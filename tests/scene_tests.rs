use marauder_vis::scene::{unit_node_id, NodePos, Scene, SceneNode, SELECTION_NODE_ID};
use marauder_vis::types::{MapPos, MeshId};

#[test]
fn unit_nodes_never_take_the_marker_id() {
    assert_eq!(unit_node_id(7), 7);
    assert_ne!(unit_node_id(u32::MAX), SELECTION_NODE_ID);
}

#[test]
fn set_pos_keeps_other_fields_and_ignores_missing_nodes() {
    let mut scene = Scene::new();
    let p = MapPos { x: 1, y: 2 };
    scene.set_pos(3, NodePos::at(p));
    assert!(!scene.contains(3));
    scene.insert(3, SceneNode { pos: NodePos::at(MapPos { x: 0, y: 0 }), rot: 45, mesh_id: Some(MeshId { id: 2 }), children: Vec::new() });
    scene.set_pos(3, NodePos::lifted_at(p));
    let n = scene.nodes.get(&3).unwrap();
    assert_eq!(n.pos, NodePos::lifted_at(p));
    assert_eq!(n.rot, 45);
    assert_eq!(n.mesh_id, Some(MeshId { id: 2 }));
    assert!(scene.remove(3).is_some());
    assert!(scene.remove(3).is_none());
}
