use crate::event::Event;
use crate::types::{MapPos, UnitId, UnitTypeId};
use vstd::prelude::*;

verus! {

/// A unit as the local mirror of the game state knows it.
#[derive(Clone, Copy, Debug, PartialEq, Eq, Structural)]
pub struct Unit {
    pub id: UnitId,
    pub pos: MapPos,
    pub type_id: UnitTypeId,
}

/// No two units share an id.
pub open spec fn ids_unique(s: Seq<Unit>) -> bool {
    forall|i: int, j: int| 0 <= i < s.len() && 0 <= j < s.len() && i != j ==> s[i].id != s[j].id
}

/// Index of the unit with id `id`, or -1.
pub open spec fn index_of_id(s: Seq<Unit>, id: UnitId) -> int {
    if exists|i: int| 0 <= i < s.len() && s[i].id == id {
        choose|i: int| 0 <= i < s.len() && s[i].id == id
    } else {
        -1
    }
}

/// Index of the first unit standing on `pos`, or -1.
pub open spec fn index_at(s: Seq<Unit>, pos: MapPos) -> int {
    if exists|i: int| 0 <= i < s.len() && s[i].pos == pos && forall|j: int| 0 <= j < i ==> s[j].pos != pos {
        choose|i: int| 0 <= i < s.len() && s[i].pos == pos && forall|j: int| 0 <= j < i ==> s[j].pos != pos
    } else {
        -1
    }
}

pub open spec fn has_unit_at(s: Seq<Unit>, pos: MapPos) -> bool {
    exists|i: int| 0 <= i < s.len() && s[i].pos == pos
}

/// In a state with unique ids, the unit at index `i` is the one that its
/// id finds.
pub proof fn lemma_index_of_id(s: Seq<Unit>, id: UnitId, i: int)
    requires
        ids_unique(s),
        0 <= i < s.len(),
        s[i].id == id,
    ensures
        index_of_id(s, id) == i,
{
}

proof fn lemma_index_of_missing(s: Seq<Unit>, id: UnitId)
    requires
        forall|i: int| 0 <= i < s.len() ==> s[i].id != id,
    ensures
        index_of_id(s, id) == -1,
{
}

/// What applying `e` to the units `s` gives.
pub open spec fn units_after(s: Seq<Unit>, e: Event) -> Seq<Unit> {
    match e {
        Event::Move { unit_id, path } => {
            let i = index_of_id(s, unit_id);
            if i >= 0 && path@.len() > 0 {
                s.update(i, Unit { pos: path@.last(), ..s[i] })
            } else {
                s
            }
        },
        Event::EndTurn { .. } => s,
        Event::CreateUnit { unit_id, pos, type_id } => {
            let i = index_of_id(s, unit_id);
            if i >= 0 {
                s.update(i, Unit { id: unit_id, pos, type_id })
            } else {
                s.push(Unit { id: unit_id, pos, type_id })
            }
        },
        Event::AttackUnit { defender_id, killed, .. } => {
            let i = index_of_id(s, defender_id);
            if killed && i >= 0 {
                s.remove(i)
            } else {
                s
            }
        },
    }
}

/// The local mirror of the authoritative game state: the units one player
/// knows of.
pub struct GameState {
    units: Vec<Unit>,
}

impl View for GameState {
    type V = Seq<Unit>;

    closed spec fn view(&self) -> Seq<Unit> {
        self.units@
    }
}

impl GameState {
    pub open spec fn wf(&self) -> bool {
        ids_unique(self@)
    }

    /// A state with no units.
    pub fn new() -> (r: GameState)
        ensures
            r.wf(),
            r@ == Seq::<Unit>::empty(),
    {
        GameState { units: Vec::new() }
    }

    /// The units, in the order in which they came.
    pub fn units(&self) -> (r: &Vec<Unit>)
        ensures
            r@ == self@,
    {
        &self.units
    }

    fn find_index(&self, id: UnitId) -> (r: Option<usize>)
        requires
            self.wf(),
        ensures
            match r {
                Some(i) => i < self@.len() && self@[i as int].id == id && index_of_id(self@, id) == i,
                None => index_of_id(self@, id) == -1 && forall|j: int| 0 <= j < self@.len() ==> self@[j].id != id,
            },
    {
        let mut i: usize = 0;
        while i < self.units.len()
            invariant
                i <= self@.len(),
                self.wf(),
                forall|j: int| 0 <= j < i ==> self@[j].id != id,
            decreases self@.len() - i,
        {
            if self.units[i].id == id {
                proof {
                    lemma_index_of_id(self@, id, i as int);
                }
                return Some(i);
            }
            i = i + 1;
        }
        proof {
            lemma_index_of_missing(self@, id);
        }
        None
    }

    /// The unit with id `id`, if there is one.
    pub fn unit(&self, id: UnitId) -> (r: Option<Unit>)
        requires
            self.wf(),
        ensures
            r == (if index_of_id(self@, id) >= 0 {
                Some(self@[index_of_id(self@, id)])
            } else {
                None::<Unit>
            }),
            r is Some <==> exists|i: int| 0 <= i < self@.len() && self@[i].id == id,
    {
        match self.find_index(id) {
            Some(i) => Some(self.units[i]),
            None => None,
        }
    }

    /// The first unit standing on `pos`, if any.
    pub fn unit_at(&self, pos: MapPos) -> (r: Option<Unit>)
        ensures
            r == (if index_at(self@, pos) >= 0 {
                Some(self@[index_at(self@, pos)])
            } else {
                None::<Unit>
            }),
            r is Some <==> has_unit_at(self@, pos),
            r matches Some(u) ==> u.pos == pos,
    {
        let mut i: usize = 0;
        while i < self.units.len()
            invariant
                i <= self@.len(),
                forall|j: int| 0 <= j < i ==> self@[j].pos != pos,
            decreases self@.len() - i,
        {
            if self.units[i].pos == pos {
                let ghost gi = i as int;
                assert(0 <= gi < self@.len() && self@[gi].pos == pos && forall|j: int| 0 <= j < gi ==> self@[j].pos != pos);
                proof {
                    let k = index_at(self@, pos);
                    assert(0 <= k < self@.len() && self@[k].pos == pos && forall|j: int| 0 <= j < k ==> self@[j].pos != pos);
                    if k < gi {
                        assert(self@[k].pos != pos);
                    } else if k > gi {
                        assert(self@[gi].pos != pos);
                    }
                }
                return Some(self.units[i]);
            }
            i = i + 1;
        }
        None
    }

    /// Applies a resolved event to the mirror.
    pub fn apply_event(&mut self, e: &Event)
        requires
            old(self).wf(),
        ensures
            final(self).wf(),
            final(self)@ == units_after(old(self)@, *e),
    {
        match e {
            Event::Move { unit_id, path } => {
                if let Some(i) = self.find_index(*unit_id) {
                    if path.len() > 0 {
                        let u = self.units[i];
                        self.units.set(i, Unit { id: u.id, pos: path[path.len() - 1], type_id: u.type_id });
                    }
                }
            },
            Event::EndTurn { .. } => {},
            Event::CreateUnit { unit_id, pos, type_id } => {
                match self.find_index(*unit_id) {
                    Some(i) => {
                        self.units.set(i, Unit { id: *unit_id, pos: *pos, type_id: *type_id });
                    },
                    None => {
                        self.units.push(Unit { id: *unit_id, pos: *pos, type_id: *type_id });
                    },
                }
            },
            Event::AttackUnit { defender_id, killed, .. } => {
                if *killed {
                    if let Some(i) = self.find_index(*defender_id) {
                        let _ = self.units.remove(i);
                    }
                }
            },
        }
    }
}

} // verus!
