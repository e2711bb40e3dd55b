use crate::game_state::{index_of_id, GameState};
use crate::scene::{NodePos, Scene, SceneNode, SELECTION_NODE_ID};
use crate::types::{MeshId, UnitId};
use vstd::prelude::*;

verus! {

/// Keeps the marker of the selected unit in a scene.
pub struct SelectionManager {
    unit_id: Option<UnitId>,
    mesh_id: MeshId,
}

/// Where the marker of unit `unit_id` stands, if the unit is known.
pub open spec fn marker_pos(state: GameState, unit_id: UnitId) -> NodePos {
    NodePos::spec_lifted_at(state@[index_of_id(state@, unit_id)].pos)
}

/// `n` is a fresh marker node for unit `unit_id`, drawn with `mesh_id`.
pub open spec fn is_marker_node(n: SceneNode, state: GameState, unit_id: UnitId, mesh_id: MeshId) -> bool {
    &&& n.pos == marker_pos(state, unit_id)
    &&& n.rot == 0
    &&& n.mesh_id == Some(mesh_id)
    &&& n.children@.len() == 0
}

pub open spec fn knows_unit(state: GameState, unit_id: UnitId) -> bool {
    index_of_id(state@, unit_id) >= 0
}

impl SelectionManager {
    pub closed spec fn spec_unit_id(&self) -> Option<UnitId> {
        self.unit_id
    }

    pub closed spec fn spec_mesh_id(&self) -> MeshId {
        self.mesh_id
    }

    /// Nothing selected; the marker will be drawn with `mesh_id`.
    pub fn new(mesh_id: MeshId) -> (r: SelectionManager)
        ensures
            r.spec_unit_id() is None,
            r.spec_mesh_id() == mesh_id,
    {
        SelectionManager { unit_id: None, mesh_id }
    }

    /// The selected unit, if any.
    pub fn unit_id(&self) -> (r: Option<UnitId>)
        ensures
            r == self.spec_unit_id(),
    {
        self.unit_id
    }

    fn set_unit_id(&mut self, unit_id: UnitId)
        ensures
            final(self).spec_unit_id() == Some(unit_id),
            final(self).spec_mesh_id() == old(self).spec_mesh_id(),
    {
        self.unit_id = Some(unit_id);
    }

    fn get_pos(&self, state: &GameState) -> (r: NodePos)
        requires
            state.wf(),
            self.spec_unit_id() matches Some(id) && knows_unit(*state, id),
        ensures
            r == marker_pos(*state, self.spec_unit_id()->0),
    {
        let unit_id = self.unit_id.unwrap();
        let unit = state.unit(unit_id).unwrap();
        NodePos::lifted_at(unit.pos)
    }

    /// Moves the marker to where the selected unit now stands. Nothing
    /// changes where no unit is selected or the unit is gone.
    pub fn move_selection_marker(&self, state: &GameState, scene: &mut Scene)
        requires
            state.wf(),
        ensures
            final(scene)@ == (if self.spec_unit_id() is Some && knows_unit(
                *state,
                self.spec_unit_id()->0,
            ) && old(scene)@.contains_key(SELECTION_NODE_ID) {
                old(scene)@.insert(
                    SELECTION_NODE_ID,
                    old(scene)@[SELECTION_NODE_ID].with_pos(
                        marker_pos(*state, self.spec_unit_id()->0),
                    ),
                )
            } else {
                old(scene)@
            }),
    {
        match self.unit_id {
            Some(id) => {
                if state.unit(id).is_some() {
                    let pos = self.get_pos(state);
                    scene.set_pos(SELECTION_NODE_ID, pos);
                }
            },
            None => {},
        }
    }

    /// Selects `unit_id` and puts a fresh marker node over it, replacing
    /// any earlier marker.
    pub fn create_selection_marker(&mut self, state: &GameState, scene: &mut Scene, unit_id: UnitId)
        requires
            state.wf(),
            knows_unit(*state, unit_id),
        ensures
            final(self).spec_unit_id() == Some(unit_id),
            final(self).spec_mesh_id() == old(self).spec_mesh_id(),
            final(scene)@ == old(scene)@.insert(SELECTION_NODE_ID, final(scene)@[SELECTION_NODE_ID]),
            is_marker_node(final(scene)@[SELECTION_NODE_ID], *state, unit_id, old(self).spec_mesh_id()),
    {
        self.set_unit_id(unit_id);
        if scene.contains(SELECTION_NODE_ID) {
            let _ = scene.remove(SELECTION_NODE_ID);
        }
        let node = SceneNode {
            pos: self.get_pos(state),
            rot: 0,
            mesh_id: Some(self.mesh_id),
            children: Vec::new(),
        };
        scene.insert(SELECTION_NODE_ID, node);
        assert(scene@ =~= old(scene)@.insert(SELECTION_NODE_ID, scene@[SELECTION_NODE_ID]));
    }

    /// Drops the selection and its marker node.
    pub fn deselect(&mut self, scene: &mut Scene)
        ensures
            final(self).spec_unit_id() is None,
            final(self).spec_mesh_id() == old(self).spec_mesh_id(),
            final(scene)@ == old(scene)@.remove(SELECTION_NODE_ID),
    {
        let _ = scene.remove(SELECTION_NODE_ID);
        self.unit_id = None;
    }
}

} // verus!
