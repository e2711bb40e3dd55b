use crate::types::{MapPos, MeshId, UnitId};
use std::collections::HashMap;
use vstd::prelude::*;

verus! {

broadcast use vstd::std_specs::hash::group_hash_axioms;

/// Identifier of a scene node. Unit nodes use the unit's id; reserved
/// singleton nodes use ids above every unit id.
pub type NodeId = u64;

/// The reserved node that shows the selection marker.
pub const SELECTION_NODE_ID: NodeId = 0xFFFF_FFFF_FFFF_FFFF;

/// Largest id that a unit node can have.
pub const MAX_UNIT_NODE_ID: NodeId = 0xFFFF_FFFF;

/// The node that stands for a unit.
pub open spec fn spec_unit_node_id(unit_id: UnitId) -> NodeId {
    unit_id as NodeId
}

/// The node that stands for a unit.
pub fn unit_node_id(unit_id: UnitId) -> (r: NodeId)
    ensures
        r == spec_unit_node_id(unit_id),
        r <= MAX_UNIT_NODE_ID,
        r != SELECTION_NODE_ID,
{
    unit_id as NodeId
}

/// Position of a node in render space, stated over the map: the point that
/// lies `num / den` of the way from the centre of tile `from` to the centre
/// of tile `to`, raised above the ground when `lifted`. The renderer turns it
/// into a world coordinate with the map geometry.
#[derive(Clone, Copy, Debug, PartialEq, Eq, Structural)]
pub struct NodePos {
    pub from: MapPos,
    pub to: MapPos,
    pub num: u32,
    pub den: u32,
    pub lifted: bool,
}

impl NodePos {
    pub open spec fn wf(self) -> bool {
        0 < self.den && self.num <= self.den
    }

    /// The node stands exactly on the centre of tile `p`.
    pub open spec fn is_at(self, p: MapPos) -> bool {
        ||| self.num == 0 && self.from == p
        ||| self.num == self.den && self.to == p
    }

    pub open spec fn spec_at(p: MapPos) -> NodePos {
        NodePos { from: p, to: p, num: 0, den: 1, lifted: false }
    }

    pub open spec fn spec_lifted_at(p: MapPos) -> NodePos {
        NodePos { from: p, to: p, num: 0, den: 1, lifted: true }
    }

    /// On the ground at the centre of tile `p`.
    pub fn at(p: MapPos) -> (r: NodePos)
        ensures
            r == Self::spec_at(p),
            r.wf(),
            r.is_at(p),
    {
        NodePos { from: p, to: p, num: 0, den: 1, lifted: false }
    }

    /// Raised above the centre of tile `p`.
    pub fn lifted_at(p: MapPos) -> (r: NodePos)
        ensures
            r == Self::spec_lifted_at(p),
            r.wf(),
            r.is_at(p),
    {
        NodePos { from: p, to: p, num: 0, den: 1, lifted: true }
    }
}

/// A renderable entry of a scene.
#[derive(Debug)]
pub struct SceneNode {
    pub pos: NodePos,
    /// Rotation around the vertical axis, in degrees.
    pub rot: i32,
    pub mesh_id: Option<MeshId>,
    /// Parts drawn with the parent's transform added to their own.
    pub children: Vec<SceneNode>,
}

/// What one player sees: renderable nodes by id.
pub struct Scene {
    pub nodes: HashMap<NodeId, SceneNode>,
}

impl View for Scene {
    type V = Map<NodeId, SceneNode>;

    open spec fn view(&self) -> Map<NodeId, SceneNode> {
        self.nodes@
    }
}

impl Scene {
    /// An empty scene.
    pub fn new() -> (r: Scene)
        ensures
            r@ == Map::<NodeId, SceneNode>::empty(),
    {
        Scene { nodes: HashMap::new() }
    }

    pub fn contains(&self, id: NodeId) -> (r: bool)
        ensures
            r == self@.contains_key(id),
    {
        self.nodes.contains_key(&id)
    }

    /// Puts `node` under `id`, replacing what was there.
    pub fn insert(&mut self, id: NodeId, node: SceneNode)
        ensures
            final(self)@ == old(self)@.insert(id, node),
    {
        let _ = self.nodes.insert(id, node);
    }

    /// Takes the node under `id` out of the scene.
    pub fn remove(&mut self, id: NodeId) -> (r: Option<SceneNode>)
        ensures
            final(self)@ == old(self)@.remove(id),
            r == (if old(self)@.contains_key(id) {
                Some(old(self)@[id])
            } else {
                None::<SceneNode>
            }),
    {
        self.nodes.remove(&id)
    }

    /// Moves the node under `id` to `pos`, keeping its other fields; no
    /// change where there is no such node.
    pub fn set_pos(&mut self, id: NodeId, pos: NodePos)
        ensures
            final(self)@ == (if old(self)@.contains_key(id) {
                old(self)@.insert(id, old(self)@[id].with_pos(pos))
            } else {
                old(self)@
            }),
    {
        match self.nodes.remove(&id) {
            Some(node) => {
                let moved = SceneNode {
                    pos,
                    rot: node.rot,
                    mesh_id: node.mesh_id,
                    children: node.children,
                };
                let _ = self.nodes.insert(id, moved);
                assert(self@ =~= old(self)@.insert(id, old(self)@[id].with_pos(pos)));
            },
            None => {
                assert(self@ =~= old(self)@);
            },
        }
    }
}

impl SceneNode {
    /// The same node at another position.
    pub open spec fn with_pos(self, pos: NodePos) -> SceneNode {
        SceneNode { pos, ..self }
    }
}

} // verus!
