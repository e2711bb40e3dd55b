use marauder_vis::event::{Command, Event};
use marauder_vis::player_view::{PathRequest, PlayerView};
use marauder_vis::scene::{NodePos, SELECTION_NODE_ID};
use marauder_vis::types::{MapPos, MeshId, UnitTypeId};
use marauder_vis::unit_type_visual_info::{UnitTypeVisualInfo, UnitTypeVisualInfoManager};

fn pos(x: i32, y: i32) -> MapPos {
    MapPos { x, y }
}

fn info() -> UnitTypeVisualInfoManager {
    let mut m = UnitTypeVisualInfoManager::new();
    m.add_info(UnitTypeVisualInfo { mesh_id: MeshId { id: 1 }, move_speed: 500 });
    m
}

/// Runs the loop until the running animation has been applied; returns the
/// number of frames drawn and what the last logic step returned.
fn drive(view: &mut PlayerView, info: &UnitTypeVisualInfoManager) -> (u32, Option<u32>) {
    let mut frames = 0;
    loop {
        let r = view.logic(None, info);
        if !view.is_animating() {
            return (frames, r);
        }
        view.draw_animation();
        frames += 1;
        assert!(frames < 10_000);
    }
}

fn view_with_unit_at(p: MapPos, info: &UnitTypeVisualInfoManager) -> PlayerView {
    let mut view = PlayerView::new(MeshId { id: 9 });
    view.logic(Some(Event::CreateUnit { unit_id: 0, pos: p, type_id: UnitTypeId { id: 0 } }), info);
    drive(&mut view, info);
    view
}

#[test]
fn move_scenario_three_by_three() {
    let info = info();
    let mut view = view_with_unit_at(pos(0, 0), &info);
    view.set_picked_tile(Some(pos(0, 0)));
    assert_eq!(view.click(), Some(PathRequest::Fill { unit_id: 0 }));
    view.set_picked_tile(Some(pos(2, 0)));
    assert_eq!(view.click(), Some(PathRequest::PathTo { unit_id: 0, dest: pos(2, 0) }));
    let path = vec![pos(1, 0), pos(2, 0)];
    assert_eq!(path.len(), 2);
    let cmd = Command::Move { unit_id: 0, path: path.clone() };
    assert!(matches!(cmd, Command::Move { unit_id: 0, .. }));
    assert!(view.logic(Some(Event::Move { unit_id: 0, path }), &info).is_none());
    assert!(view.is_animating());
    let (frames, refill) = drive(&mut view, &info);
    assert_eq!(frames, 4);
    assert_eq!(refill, Some(0));
    assert_eq!(view.scene().nodes.get(&0).unwrap().pos, NodePos::at(pos(2, 0)));
    assert_eq!(view.state().unit(0).unwrap().pos, pos(2, 0));
    assert_eq!(view.scene().nodes.get(&SELECTION_NODE_ID).unwrap().pos, NodePos::lifted_at(pos(2, 0)));
}

#[test]
fn create_unit_on_occupied_tile_is_not_sent() {
    let info = info();
    let mut view = view_with_unit_at(pos(1, 1), &info);
    let mut log: Vec<Command> = Vec::new();
    view.set_picked_tile(Some(pos(1, 1)));
    if let Some(c) = view.create_unit() {
        log.push(c);
    }
    assert!(log.is_empty());
    view.set_picked_tile(Some(pos(2, 1)));
    assert!(matches!(view.create_unit(), Some(Command::CreateUnit { pos: MapPos { x: 2, y: 1 } })));
}

#[test]
fn create_unit_needs_a_picked_tile() {
    let view = PlayerView::new(MeshId { id: 9 });
    assert!(view.create_unit().is_none());
}

#[test]
fn marker_follows_selection() {
    let info = info();
    let mut view = view_with_unit_at(pos(0, 1), &info);
    assert!(!view.scene().contains(SELECTION_NODE_ID));
    view.set_picked_tile(Some(pos(0, 1)));
    view.click();
    assert_eq!(view.selected_unit_id(), Some(0));
    assert!(view.scene().contains(SELECTION_NODE_ID));
    assert!(matches!(view.end_turn(), Some(Command::EndTurn)));
    assert_eq!(view.selected_unit_id(), None);
    assert!(!view.scene().contains(SELECTION_NODE_ID));
}

#[test]
fn click_on_empty_tile_without_selection_does_nothing() {
    let info = info();
    let mut view = view_with_unit_at(pos(0, 0), &info);
    view.set_picked_tile(Some(pos(1, 0)));
    assert_eq!(view.click(), None);
    assert_eq!(view.selected_unit_id(), None);
}

#[test]
fn input_is_ignored_during_animation() {
    let info = info();
    let mut view = PlayerView::new(MeshId { id: 9 });
    view.logic(Some(Event::CreateUnit { unit_id: 3, pos: pos(0, 0), type_id: UnitTypeId { id: 0 } }), &info);
    assert!(view.is_animating());
    view.set_picked_tile(Some(pos(0, 0)));
    assert_eq!(view.click(), None);
    assert!(view.end_turn().is_none());
    assert!(view.attack_unit().is_none());
}

#[test]
fn attack_kills_defender_and_keeps_marker_on_attacker() {
    let info = info();
    let mut view = view_with_unit_at(pos(0, 0), &info);
    view.logic(Some(Event::CreateUnit { unit_id: 1, pos: pos(1, 0), type_id: UnitTypeId { id: 0 } }), &info);
    drive(&mut view, &info);
    view.set_picked_tile(Some(pos(0, 0)));
    view.click();
    view.set_picked_tile(Some(pos(1, 0)));
    assert!(matches!(view.attack_unit(), Some(Command::AttackUnit { attacker_id: 0, defender_id: 1 })));
    view.logic(Some(Event::AttackUnit { attacker_id: 0, defender_id: 1, killed: true }), &info);
    let (frames, refill) = drive(&mut view, &info);
    assert_eq!(frames, 20);
    assert_eq!(refill, Some(0));
    assert!(!view.scene().contains(1));
    assert!(view.state().unit(1).is_none());
    assert_eq!(view.scene().nodes.get(&0).unwrap().pos, NodePos::at(pos(0, 0)));
    assert!(view.scene().contains(SELECTION_NODE_ID));
}

#[test]
fn losing_the_selected_unit_drops_the_marker() {
    let info = info();
    let mut view = view_with_unit_at(pos(0, 0), &info);
    view.logic(Some(Event::CreateUnit { unit_id: 1, pos: pos(1, 0), type_id: UnitTypeId { id: 0 } }), &info);
    drive(&mut view, &info);
    view.set_picked_tile(Some(pos(1, 0)));
    view.click();
    view.logic(Some(Event::AttackUnit { attacker_id: 0, defender_id: 1, killed: true }), &info);
    let (_, refill) = drive(&mut view, &info);
    assert_eq!(refill, None);
    assert_eq!(view.selected_unit_id(), None);
    assert!(!view.scene().contains(SELECTION_NODE_ID));
}

#[test]
fn end_turn_event_takes_no_frame() {
    let info = info();
    let mut view = PlayerView::new(MeshId { id: 9 });
    view.logic(Some(Event::EndTurn { old_player_id: 0, new_player_id: 1 }), &info);
    assert!(view.is_animating());
    let (frames, _) = drive(&mut view, &info);
    assert_eq!(frames, 0);
}
