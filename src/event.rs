use crate::types::{MapPos, PlayerId, UnitId, UnitTypeId};
use vstd::prelude::*;

verus! {

/// An atomic, already resolved outcome of the simulation.
#[derive(Debug)]
pub enum Event {
    /// The unit walks along `path`, one tile per entry; its start tile is
    /// not part of the path.
    Move { unit_id: UnitId, path: Vec<MapPos> },
    EndTurn { old_player_id: PlayerId, new_player_id: PlayerId },
    CreateUnit { unit_id: UnitId, pos: MapPos, type_id: UnitTypeId },
    /// `killed` tells whether the defender does not survive.
    AttackUnit { attacker_id: UnitId, defender_id: UnitId, killed: bool },
}

/// A request sent to the simulation.
#[derive(Debug)]
pub enum Command {
    EndTurn,
    CreateUnit { pos: MapPos },
    AttackUnit { attacker_id: UnitId, defender_id: UnitId },
    Move { unit_id: UnitId, path: Vec<MapPos> },
}

} // verus!
