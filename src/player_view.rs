use crate::event::{Command, Event};
use crate::event_visualizer::{moved, Animation, EventVisualizer, Phase};
use crate::game_state::{has_unit_at, index_at, index_of_id, units_after, GameState, Unit};
use crate::scene::{Scene, SceneNode, SELECTION_NODE_ID};
use crate::selection::{is_marker_node, knows_unit, marker_pos, SelectionManager};
use crate::types::{MapPos, MeshId, UnitId};
use crate::unit_type_visual_info::{UnitTypeVisualInfo, UnitTypeVisualInfoManager};
use vstd::prelude::*;

verus! {

/// The speed a walk of a unit of this kind gets.
pub open spec fn walk_speed(info: UnitTypeVisualInfo) -> u32 {
    if info.move_speed == 0 {
        1
    } else {
        info.move_speed
    }
}

/// `a` is the animation that shows `e` to a player who knows `units`.
pub open spec fn is_animation_for(
    a: Animation,
    e: Event,
    units: Seq<Unit>,
    info: Seq<UnitTypeVisualInfo>,
) -> bool {
    match e {
        Event::Move { unit_id, path } => {
            let i = index_of_id(units, unit_id);
            if i >= 0 && units[i].type_id.id < info.len() {
                let t = info[units[i].type_id.id as int];
                a matches Animation::Move { unit_id: u, mesh_id: m, start: s, path: p, speed: v, step: k, progress: q }
                    && u == unit_id && m == t.mesh_id && s == units[i].pos && p@ == path@
                    && v == walk_speed(t) && k == 0 && q == 0
            } else {
                a == Animation::Skip
            }
        },
        Event::EndTurn { .. } => a == Animation::EndTurn,
        Event::CreateUnit { unit_id, pos, type_id } => {
            if type_id.id < info.len() {
                a == (Animation::CreateUnit { unit_id, pos, mesh_id: info[type_id.id as int].mesh_id, frame: 0 })
            } else {
                a == Animation::Skip
            }
        },
        Event::AttackUnit { attacker_id, defender_id, killed } => {
            let i = index_of_id(units, attacker_id);
            let j = index_of_id(units, defender_id);
            if i >= 0 && j >= 0 {
                a == (Animation::AttackUnit {
                    attacker_id,
                    defender_id,
                    killed,
                    attacker_pos: units[i].pos,
                    defender_pos: units[j].pos,
                    frame: 0,
                })
            } else {
                a == Animation::Skip
            }
        },
    }
}

fn copy_path(path: &Vec<MapPos>) -> (r: Vec<MapPos>)
    ensures
        r@ == path@,
{
    let mut r: Vec<MapPos> = Vec::new();
    let mut i: usize = 0;
    while i < path.len()
        invariant
            i <= path@.len(),
            r@ == path@.subrange(0, i as int),
        decreases path@.len() - i,
    {
        r.push(path[i]);
        i = i + 1;
    }
    assert(r@ =~= path@);
    r
}

/// Builds the animation of `e` for a player who knows the units of `state`.
pub fn make_event_visualizer(e: &Event, state: &GameState, info: &UnitTypeVisualInfoManager) -> (r: EventVisualizer)
    requires
        state.wf(),
    ensures
        r.wf(),
        r.is_fresh(),
        is_animation_for(r.anim, *e, state@, info@),
{
    match e {
        Event::Move { unit_id, path } => {
            match state.unit(*unit_id) {
                Some(u) => {
                    if (u.type_id.id as usize) < info.len() {
                        let t = info.get(u.type_id);
                        EventVisualizer::new_move(*unit_id, t.mesh_id, u.pos, copy_path(path), t.move_speed)
                    } else {
                        EventVisualizer::new_skip()
                    }
                },
                None => EventVisualizer::new_skip(),
            }
        },
        Event::EndTurn { .. } => EventVisualizer::new_end_turn(),
        Event::CreateUnit { unit_id, pos, type_id } => {
            if (type_id.id as usize) < info.len() {
                let t = info.get(*type_id);
                EventVisualizer::new_create_unit(*unit_id, *pos, t.mesh_id)
            } else {
                EventVisualizer::new_skip()
            }
        },
        Event::AttackUnit { attacker_id, defender_id, killed } => {
            match (state.unit(*attacker_id), state.unit(*defender_id)) {
                (Some(a), Some(d)) => EventVisualizer::new_attack_unit(*attacker_id, *defender_id, *killed, a.pos, d.pos),
                _ => EventVisualizer::new_skip(),
            }
        },
    }
}

/// What the selection becomes once an event has been applied: a selected
/// unit that still lives keeps its marker, moved to where it now stands,
/// and its reachable tiles are recomputed; a selected unit that is gone is
/// deselected.
pub open spec fn selection_settled(
    selected: Option<UnitId>,
    state: GameState,
    scene: Map<u64, SceneNode>,
    new_selected: Option<UnitId>,
    new_scene: Map<u64, SceneNode>,
    refill: Option<UnitId>,
) -> bool {
    match selected {
        Some(id) => if knows_unit(state, id) {
            &&& new_selected == Some(id)
            &&& new_scene == moved(scene, SELECTION_NODE_ID, marker_pos(state, id))
            &&& refill == Some(id)
        } else {
            &&& new_selected is None
            &&& new_scene == scene.remove(SELECTION_NODE_ID)
            &&& refill is None
        },
        None => new_selected is None && new_scene == scene && refill is None,
    }
}

/// What one logic step does to a view: see `PlayerView::logic`.
pub open spec fn logic_step(
    before: PlayerView,
    incoming: Option<Event>,
    info: Seq<UnitTypeVisualInfo>,
    after: PlayerView,
    r: Option<UnitId>,
) -> bool {
    match before.spec_animation() {
        None => match incoming {
            None => after.same_besides_pick(before) && r is None,
            Some(e) => {
                &&& after.spec_animation() matches Some(v) && v.phase == Phase::Running
                    && v.is_fresh_but_started() && is_animation_for(v.anim, e, before.spec_state()@, info)
                    && v.scene_after_start(before.spec_scene(), after.spec_scene())
                &&& after.spec_event() == Some(e)
                &&& after.spec_state() == before.spec_state()
                &&& after.spec_selected() == before.spec_selected()
                &&& r is None
            },
        },
        Some(v) => if v.spec_is_finished() {
            &&& after.spec_animation() is None
            &&& after.spec_event() is None
            &&& after.spec_state()@ == units_after(before.spec_state()@, before.spec_event()->0)
            &&& exists|mid: Map<u64, SceneNode>| #[trigger] v.scene_after_end(before.spec_scene(), mid)
                && selection_settled(
                    before.spec_selected(),
                    after.spec_state(),
                    mid,
                    after.spec_selected(),
                    after.spec_scene(),
                    r,
                )
        } else {
            after.same_besides_pick(before) && r is None
        },
    }
}

/// Animations are handed over one at a time: a logic step starts a new
/// animation only when none was running, keeps a running one unchanged until
/// it has finished, and drops it (after ending it and applying its event)
/// only once it has finished.
pub proof fn lemma_one_animation_at_a_time(
    before: PlayerView,
    incoming: Option<Event>,
    info: Seq<UnitTypeVisualInfo>,
    after: PlayerView,
    r: Option<UnitId>,
)
    requires
        before.wf(),
        logic_step(before, incoming, info, after, r),
    ensures
        before.spec_animation() matches Some(v) && !v.spec_is_finished() ==> after.spec_animation() == before.spec_animation()
            && after.spec_event() == before.spec_event(),
        before.spec_animation() is Some && after.spec_animation() is None ==> before.spec_animation()->0.spec_is_finished(),
        before.spec_animation() is Some ==> after.spec_animation() is None || after.spec_animation() == before.spec_animation(),
        after.spec_animation() is Some && before.spec_animation() is None ==> incoming is Some
            && after.spec_animation()->0.phase == Phase::Running,
{
}

/// A call that the frame loop makes on the pathfinder for a click.
#[derive(Clone, Copy, Debug, PartialEq, Eq, Structural)]
pub enum PathRequest {
    /// Recompute the tiles that this unit can reach.
    Fill { unit_id: UnitId },
    /// Send this unit along the path to `dest`.
    PathTo { unit_id: UnitId, dest: MapPos },
}

/// One player's view of the game: their scene, their mirror of the game
/// state, the selection, the picked tile and the event being animated.
pub struct PlayerView {
    scene: Scene,
    state: GameState,
    selection: SelectionManager,
    animation: Option<EventVisualizer>,
    event: Option<Event>,
    picked_tile: Option<MapPos>,
}

impl PlayerView {
    pub closed spec fn spec_scene(&self) -> Map<u64, SceneNode> {
        self.scene@
    }

    pub closed spec fn spec_state(&self) -> GameState {
        self.state
    }

    pub closed spec fn spec_selected(&self) -> Option<UnitId> {
        self.selection.spec_unit_id()
    }

    pub closed spec fn spec_marker_mesh(&self) -> MeshId {
        self.selection.spec_mesh_id()
    }

    pub closed spec fn spec_animation(&self) -> Option<EventVisualizer> {
        self.animation
    }

    pub closed spec fn spec_event(&self) -> Option<Event> {
        self.event
    }

    pub closed spec fn spec_picked(&self) -> Option<MapPos> {
        self.picked_tile
    }

    /// Everything but the picked tile is as in `other`.
    pub open spec fn same_besides_pick(&self, other: PlayerView) -> bool {
        &&& self.spec_scene() == other.spec_scene()
        &&& self.spec_state() == other.spec_state()
        &&& self.spec_selected() == other.spec_selected()
        &&& self.spec_marker_mesh() == other.spec_marker_mesh()
        &&& self.spec_animation() == other.spec_animation()
        &&& self.spec_event() == other.spec_event()
    }

    /// The view's invariant: the marker node is in the scene exactly while
    /// a unit is selected, a selected unit is one the player knows, and an
    /// animation runs exactly while an event waits to be applied.
    pub open spec fn wf(&self) -> bool {
        &&& self.spec_state().wf()
        &&& self.spec_scene().contains_key(SELECTION_NODE_ID) <==> self.spec_selected() is Some
        &&& self.spec_selected() matches Some(id) ==> knows_unit(self.spec_state(), id)
        &&& self.spec_animation() is Some <==> self.spec_event() is Some
        &&& self.spec_animation() matches Some(v) ==> v.wf() && v.phase == Phase::Running
    }

    /// A view with an empty scene and state, nothing selected or picked,
    /// and no animation; the selection marker is drawn with `marker_mesh`.
    pub fn new(marker_mesh: MeshId) -> (r: PlayerView)
        ensures
            r.wf(),
            r.spec_scene() == Map::<u64, SceneNode>::empty(),
            r.spec_state()@ == Seq::<Unit>::empty(),
            r.spec_selected() is None,
            r.spec_marker_mesh() == marker_mesh,
            r.spec_animation() is None,
            r.spec_picked() is None,
    {
        PlayerView {
            scene: Scene::new(),
            state: GameState::new(),
            selection: SelectionManager::new(marker_mesh),
            animation: None,
            event: None,
            picked_tile: None,
        }
    }

    pub fn scene(&self) -> (r: &Scene)
        ensures
            r@ == self.spec_scene(),
    {
        &self.scene
    }

    pub fn state(&self) -> (r: &GameState)
        ensures
            *r == self.spec_state(),
    {
        &self.state
    }

    pub fn selected_unit_id(&self) -> (r: Option<UnitId>)
        ensures
            r == self.spec_selected(),
    {
        self.selection.unit_id()
    }

    pub fn picked_tile(&self) -> (r: Option<MapPos>)
        ensures
            r == self.spec_picked(),
    {
        self.picked_tile
    }

    /// An event is being animated; the simulation must wait.
    pub fn is_animating(&self) -> (r: bool)
        ensures
            r == self.spec_animation() is Some,
    {
        self.animation.is_some()
    }

    /// Records the tile under the pointer, as this tick's pick found it.
    pub fn set_picked_tile(&mut self, tile: Option<MapPos>)
        requires
            old(self).wf(),
        ensures
            final(self).wf(),
            final(self).same_besides_pick(*old(self)),
            final(self).spec_picked() == tile,
    {
        self.picked_tile = tile;
    }

    /// The logic step of a frame. With no animation running, `incoming` is
    /// the event the simulation handed out, if any: its animation is built
    /// and started, and the event is kept. With a finished animation, the
    /// animation is ended, the kept event is applied to the state, and the
    /// selection is settled against the new state; the unit whose
    /// reachable tiles must be recomputed is returned. An unfinished
    /// animation is left to run. So at most one animation runs at a time,
    /// and each is ended exactly once, after it has finished.
    pub fn logic(&mut self, incoming: Option<Event>, info: &UnitTypeVisualInfoManager) -> (r: Option<UnitId>)
        requires
            old(self).wf(),
            incoming is Some ==> old(self).spec_animation() is None,
        ensures
            final(self).wf(),
            final(self).spec_picked() == old(self).spec_picked(),
            final(self).spec_marker_mesh() == old(self).spec_marker_mesh(),
            logic_step(*old(self), incoming, info@, *final(self), r),
    {
        if self.animation.is_none() {
            if let Some(e) = incoming {
                let mut vis = make_event_visualizer(&e, &self.state, info);
                vis.start(&mut self.scene);
                self.animation = Some(vis);
                self.event = Some(e);
            }
            return None;
        }
        let finished = match &self.animation {
            Some(v) => v.is_finished(),
            None => false,
        };
        if !finished {
            return None;
        }
        let mut vis = self.animation.take().unwrap();
        let e = self.event.take().unwrap();
        vis.end(&mut self.scene);
        let ghost mid = self.scene@;
        self.state.apply_event(&e);
        let refill = match self.selection.unit_id() {
            Some(id) => {
                if self.state.unit(id).is_some() {
                    self.selection.move_selection_marker(&self.state, &mut self.scene);
                    Some(id)
                } else {
                    self.selection.deselect(&mut self.scene);
                    None
                }
            },
            None => None,
        };
        assert(vis.scene_after_end(old(self).spec_scene(), mid));
        refill
    }

    /// The animation's frame: advances the running animation, if any, and
    /// writes its positions into the scene.
    pub fn draw_animation(&mut self)
        requires
            old(self).wf(),
        ensures
            final(self).wf(),
            final(self).spec_picked() == old(self).spec_picked(),
            final(self).spec_marker_mesh() == old(self).spec_marker_mesh(),
            final(self).spec_state() == old(self).spec_state(),
            final(self).spec_selected() == old(self).spec_selected(),
            final(self).spec_event() == old(self).spec_event(),
            match old(self).spec_animation() {
                None => final(self).same_besides_pick(*old(self)),
                Some(v) => {
                    &&& final(self).spec_animation() == Some(v.drawn())
                    &&& final(self).spec_scene() == v.drawn().scene_after_draw(old(self).spec_scene())
                },
            },
    {
        match &mut self.animation {
            Some(v) => v.draw(&mut self.scene),
            None => {},
        }
    }

    /// The end-turn key. Between animations: drops the selection and asks
    /// the simulation to end the turn. During one: does nothing.
    pub fn end_turn(&mut self) -> (r: Option<Command>)
        requires
            old(self).wf(),
        ensures
            final(self).wf(),
            old(self).spec_animation() is Some ==> final(self).same_besides_pick(*old(self)) && r is None,
            old(self).spec_animation() is None ==> {
                &&& r == Some(Command::EndTurn)
                &&& final(self).spec_selected() is None
                &&& final(self).spec_scene() == old(self).spec_scene().remove(SELECTION_NODE_ID)
                &&& final(self).spec_state() == old(self).spec_state()
                &&& final(self).spec_animation() is None
                &&& final(self).spec_event() == old(self).spec_event()
            },
            final(self).spec_picked() == old(self).spec_picked(),
            final(self).spec_marker_mesh() == old(self).spec_marker_mesh(),
    {
        if self.animation.is_some() {
            return None;
        }
        self.selection.deselect(&mut self.scene);
        Some(Command::EndTurn)
    }

    /// The create-unit key: asks for a new unit on the picked tile, unless
    /// an animation runs, no tile is picked, or a unit already stands there.
    pub fn create_unit(&self) -> (r: Option<Command>)
        ensures
            r == (if self.spec_animation() is None && self.spec_picked() is Some
                && !has_unit_at(self.spec_state()@, self.spec_picked()->0) {
                Some(Command::CreateUnit { pos: self.spec_picked()->0 })
            } else {
                None::<Command>
            }),
    {
        if self.animation.is_some() {
            return None;
        }
        match self.picked_tile {
            Some(pos) => {
                if self.state.unit_at(pos).is_none() {
                    Some(Command::CreateUnit { pos })
                } else {
                    None
                }
            },
            None => None,
        }
    }

    /// The attack key: the selected unit attacks the unit on the picked
    /// tile. Nothing is asked during an animation, without a selection or a
    /// picked tile, with no unit on the tile, or when the selected unit
    /// stands there itself.
    pub fn attack_unit(&self) -> (r: Option<Command>)
        ensures
            r == (if self.spec_animation() is None && self.spec_picked() is Some
                && self.spec_selected() is Some && has_unit_at(self.spec_state()@, self.spec_picked()->0)
                && self.spec_state()@[index_at(self.spec_state()@, self.spec_picked()->0)].id
                    != self.spec_selected()->0 {
                Some(Command::AttackUnit {
                    attacker_id: self.spec_selected()->0,
                    defender_id: self.spec_state()@[index_at(self.spec_state()@, self.spec_picked()->0)].id,
                })
            } else {
                None::<Command>
            }),
    {
        if self.animation.is_some() {
            return None;
        }
        match (self.picked_tile, self.selection.unit_id()) {
            (Some(pos), Some(attacker_id)) => match self.state.unit_at(pos) {
                Some(defender) => {
                    if defender.id != attacker_id {
                        Some(Command::AttackUnit { attacker_id, defender_id: defender.id })
                    } else {
                        None
                    }
                },
                None => None,
            },
            _ => None,
        }
    }

    /// A click on the picked tile. On a unit: selects it, puts the marker
    /// over it, and asks for its reachable tiles. On an empty tile with a
    /// unit selected: asks for the path of that unit there. Otherwise, or
    /// during an animation, nothing happens.
    pub fn click(&mut self) -> (r: Option<PathRequest>)
        requires
            old(self).wf(),
        ensures
            final(self).wf(),
            final(self).spec_picked() == old(self).spec_picked(),
            final(self).spec_marker_mesh() == old(self).spec_marker_mesh(),
            final(self).spec_state() == old(self).spec_state(),
            final(self).spec_animation() == old(self).spec_animation(),
            final(self).spec_event() == old(self).spec_event(),
            ({
                let units = old(self).spec_state()@;
                let pos = old(self).spec_picked()->0;
                if old(self).spec_animation() is None && old(self).spec_picked() is Some {
                    if has_unit_at(units, pos) {
                        let id = units[index_at(units, pos)].id;
                        &&& r == Some(PathRequest::Fill { unit_id: id })
                        &&& final(self).spec_selected() == Some(id)
                        &&& final(self).spec_scene() == old(self).spec_scene().insert(
                            SELECTION_NODE_ID,
                            final(self).spec_scene()[SELECTION_NODE_ID],
                        )
                        &&& is_marker_node(
                            final(self).spec_scene()[SELECTION_NODE_ID],
                            old(self).spec_state(),
                            id,
                            old(self).spec_marker_mesh(),
                        )
                    } else if old(self).spec_selected() is Some {
                        &&& r == Some(PathRequest::PathTo { unit_id: old(self).spec_selected()->0, dest: pos })
                        &&& final(self).same_besides_pick(*old(self))
                    } else {
                        r is None && final(self).same_besides_pick(*old(self))
                    }
                } else {
                    r is None && final(self).same_besides_pick(*old(self))
                }
            }),
    {
        if self.animation.is_some() {
            return None;
        }
        match self.picked_tile {
            Some(pos) => match self.state.unit_at(pos) {
                Some(u) => {
                    proof {
                        let units = self.state@;
                        let k = index_at(units, pos);
                        crate::game_state::lemma_index_of_id(units, u.id, k);
                    }
                    self.selection.create_selection_marker(&self.state, &mut self.scene, u.id);
                    Some(PathRequest::Fill { unit_id: u.id })
                },
                None => match self.selection.unit_id() {
                    Some(unit_id) => Some(PathRequest::PathTo { unit_id, dest: pos }),
                    None => None,
                },
            },
            None => None,
        }
    }
}

/// In every well-formed view, which each operation of `PlayerView` keeps,
/// the selection marker node is in the scene exactly when a unit is
/// selected: selecting a unit by a click puts it there, ending the turn or
/// losing the unit takes it away.
pub proof fn lemma_marker_iff_selected(v: PlayerView)
    requires
        v.wf(),
    ensures
        v.spec_scene().contains_key(SELECTION_NODE_ID) <==> v.spec_selected() is Some,
        v.spec_selected() is Some ==> knows_unit(v.spec_state(), v.spec_selected()->0),
{
}

} // verus!
