use marauder_vis::event::Event;
use marauder_vis::game_state::GameState;
use marauder_vis::types::{MapPos, UnitTypeId};

#[test]
fn events_update_the_mirror() {
    let mut s = GameState::new();
    s.apply_event(&Event::CreateUnit { unit_id: 7, pos: MapPos { x: 1, y: 1 }, type_id: UnitTypeId { id: 0 } });
    s.apply_event(&Event::CreateUnit { unit_id: 8, pos: MapPos { x: 2, y: 2 }, type_id: UnitTypeId { id: 0 } });
    assert_eq!(s.units().len(), 2);
    assert_eq!(s.unit_at(MapPos { x: 2, y: 2 }).unwrap().id, 8);
    s.apply_event(&Event::Move { unit_id: 7, path: vec![MapPos { x: 1, y: 2 }, MapPos { x: 0, y: 2 }] });
    assert_eq!(s.unit(7).unwrap().pos, MapPos { x: 0, y: 2 });
    s.apply_event(&Event::AttackUnit { attacker_id: 7, defender_id: 8, killed: false });
    assert!(s.unit(8).is_some());
    s.apply_event(&Event::AttackUnit { attacker_id: 7, defender_id: 8, killed: true });
    assert!(s.unit(8).is_none());
    assert!(s.unit_at(MapPos { x: 2, y: 2 }).is_none());
    s.apply_event(&Event::EndTurn { old_player_id: 0, new_player_id: 1 });
    assert_eq!(s.units().len(), 1);
}
