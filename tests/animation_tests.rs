use marauder_vis::event_visualizer::{EventVisualizer, Phase, ATTACK_FRAMES, CREATE_FRAMES};
use marauder_vis::scene::{NodePos, Scene, SceneNode};
use marauder_vis::types::{MapPos, MeshId};

fn pos(x: i32, y: i32) -> MapPos {
    MapPos { x, y }
}

fn run(v: &mut EventVisualizer, scene: &mut Scene) -> u32 {
    let mut n = 0;
    while !v.is_finished() {
        v.draw(scene);
        n += 1;
        assert!(n < 100_000);
    }
    v.end(scene);
    n
}

#[test]
fn move_is_unfinished_after_start_and_ends_on_last_tile() {
    let mut scene = Scene::new();
    let mut v = EventVisualizer::new_move(4, MeshId { id: 1 }, pos(0, 0), vec![pos(1, 0), pos(2, 0), pos(2, 1)], 300);
    v.start(&mut scene);
    assert!(!v.is_finished());
    assert_eq!(scene.nodes.get(&4).unwrap().pos, NodePos::at(pos(0, 0)));
    v.draw(&mut scene);
    let mid = scene.nodes.get(&4).unwrap().pos;
    assert_eq!(mid.from, pos(0, 0));
    assert_eq!(mid.to, pos(1, 0));
    assert_eq!((mid.num, mid.den), (300, 1000));
    let n = run(&mut v, &mut scene) + 1;
    assert_eq!(n, 12);
    assert_eq!(v.phase, Phase::Finished);
    assert_eq!(scene.nodes.get(&4).unwrap().pos, NodePos::at(pos(2, 1)));
}

#[test]
fn move_keeps_existing_node_fields() {
    let mut scene = Scene::new();
    scene.insert(4, SceneNode { pos: NodePos::at(pos(5, 5)), rot: 90, mesh_id: Some(MeshId { id: 7 }), children: Vec::new() });
    let mut v = EventVisualizer::new_move(4, MeshId { id: 1 }, pos(0, 0), vec![pos(1, 0)], 1000);
    v.start(&mut scene);
    assert_eq!(run(&mut v, &mut scene), 1);
    let node = scene.nodes.get(&4).unwrap();
    assert_eq!(node.rot, 90);
    assert_eq!(node.mesh_id, Some(MeshId { id: 7 }));
    assert_eq!(node.pos, NodePos::at(pos(1, 0)));
}

#[test]
fn zero_speed_walk_still_finishes() {
    let mut scene = Scene::new();
    let mut v = EventVisualizer::new_move(1, MeshId { id: 1 }, pos(0, 0), vec![pos(0, 1)], 0);
    v.start(&mut scene);
    assert_eq!(run(&mut v, &mut scene), 1000);
}

#[test]
fn empty_walk_is_instant() {
    let mut scene = Scene::new();
    let mut v = EventVisualizer::new_move(1, MeshId { id: 1 }, pos(3, 3), Vec::new(), 10);
    v.start(&mut scene);
    assert!(v.is_finished());
}

#[test]
fn end_turn_is_instant() {
    let mut scene = Scene::new();
    let mut v = EventVisualizer::new_end_turn();
    v.start(&mut scene);
    assert!(v.is_finished());
    v.end(&mut scene);
    assert!(scene.nodes.is_empty());
}

#[test]
fn create_unit_drops_onto_its_tile() {
    let mut scene = Scene::new();
    let mut v = EventVisualizer::new_create_unit(2, pos(1, 2), MeshId { id: 3 });
    v.start(&mut scene);
    assert!(!v.is_finished());
    assert_eq!(scene.nodes.get(&2).unwrap().pos, NodePos::lifted_at(pos(1, 2)));
    assert_eq!(run(&mut v, &mut scene), CREATE_FRAMES);
    let node = scene.nodes.get(&2).unwrap();
    assert_eq!(node.pos, NodePos::at(pos(1, 2)));
    assert_eq!(node.mesh_id, Some(MeshId { id: 3 }));
}

#[test]
fn attack_lunges_and_returns() {
    let mut scene = Scene::new();
    scene.insert(1, SceneNode { pos: NodePos::at(pos(0, 0)), rot: 0, mesh_id: None, children: Vec::new() });
    scene.insert(2, SceneNode { pos: NodePos::at(pos(1, 0)), rot: 0, mesh_id: None, children: Vec::new() });
    let mut v = EventVisualizer::new_attack_unit(1, 2, false, pos(0, 0), pos(1, 0));
    v.start(&mut scene);
    assert!(!v.is_finished());
    for _ in 0..10 {
        v.draw(&mut scene);
    }
    let peak = scene.nodes.get(&1).unwrap().pos;
    assert_eq!((peak.from, peak.to, peak.num, peak.den), (pos(0, 0), pos(1, 0), 10, 40));
    assert_eq!(run(&mut v, &mut scene) + 10, ATTACK_FRAMES);
    assert_eq!(scene.nodes.get(&1).unwrap().pos, NodePos::at(pos(0, 0)));
    assert!(scene.contains(2));
}
