use crate::scene::{spec_unit_node_id, unit_node_id, NodePos, Scene, SceneNode};
use crate::types::{MapPos, MeshId, UnitId};
use vstd::prelude::*;

verus! {

/// Fraction units that make one tile step of a move.
pub const STEP: u32 = 1000;

/// Frames that the spawn of a new unit lasts.
pub const CREATE_FRAMES: u32 = 10;

/// Frames that an attack lasts.
pub const ATTACK_FRAMES: u32 = 20;

/// Denominator of the attacker's lunge towards its target.
pub const LUNGE_DEN: u32 = 40;

/// Where an animation stands in its protocol.
#[derive(Clone, Copy, Debug, PartialEq, Eq, Structural)]
pub enum Phase {
    NotStarted,
    Running,
    Finished,
}

/// The animation of one event, with its progress.
#[derive(Debug)]
pub enum Animation {
    /// The unit walks from `start` along `path`; `step` segments are done
    /// and `progress / STEP` of the next one.
    Move {
        unit_id: UnitId,
        mesh_id: MeshId,
        start: MapPos,
        path: Vec<MapPos>,
        speed: u32,
        step: usize,
        progress: u32,
    },
    /// The hand-over of the turn: shows nothing and takes no frame.
    EndTurn,
    /// An event whose subject this view does not know: shows nothing and
    /// takes no frame.
    Skip,
    /// The new unit drops onto its tile over `CREATE_FRAMES` frames.
    CreateUnit { unit_id: UnitId, pos: MapPos, mesh_id: MeshId, frame: u32 },
    /// The attacker lunges at the defender and back over `ATTACK_FRAMES`
    /// frames; a killed defender is removed at the end.
    AttackUnit {
        attacker_id: UnitId,
        defender_id: UnitId,
        killed: bool,
        attacker_pos: MapPos,
        defender_pos: MapPos,
        frame: u32,
    },
}

/// Tile `k` of a walk: the start, then the path's entries.
pub open spec fn walk_tile(start: MapPos, path: Seq<MapPos>, k: int) -> MapPos {
    if k == 0 {
        start
    } else {
        path[k - 1]
    }
}

/// Where a walk ends.
pub open spec fn walk_end(start: MapPos, path: Seq<MapPos>) -> MapPos {
    if path.len() == 0 {
        start
    } else {
        path.last()
    }
}

/// Where the walker stands after `step` segments and `progress` of the next.
pub open spec fn walk_pos(start: MapPos, path: Seq<MapPos>, step: int, progress: u32) -> NodePos {
    if step < path.len() {
        NodePos {
            from: walk_tile(start, path, step),
            to: walk_tile(start, path, step + 1),
            num: progress,
            den: STEP,
            lifted: false,
        }
    } else {
        NodePos::spec_at(walk_end(start, path))
    }
}

/// How far the attacker has lunged at `frame`.
pub open spec fn lunge_pos(attacker_pos: MapPos, defender_pos: MapPos, frame: u32) -> NodePos {
    NodePos {
        from: attacker_pos,
        to: defender_pos,
        num: if frame <= ATTACK_FRAMES - frame { frame } else { (ATTACK_FRAMES - frame) as u32 },
        den: LUNGE_DEN,
        lifted: false,
    }
}

/// `new` is `old` with a fresh node for a unit under `id`.
pub open spec fn gains_fresh_node(
    old: Map<u64, SceneNode>,
    new: Map<u64, SceneNode>,
    id: u64,
    pos: NodePos,
    mesh_id: MeshId,
) -> bool {
    &&& new == old.insert(id, new[id])
    &&& new[id].pos == pos
    &&& new[id].rot == 0
    &&& new[id].mesh_id == Some(mesh_id)
    &&& new[id].children@.len() == 0
}

/// The scene after moving node `id`, if present, to `pos`.
pub open spec fn moved(m: Map<u64, SceneNode>, id: u64, pos: NodePos) -> Map<u64, SceneNode> {
    if m.contains_key(id) {
        m.insert(id, m[id].with_pos(pos))
    } else {
        m
    }
}

/// Turns one simulation event into a timed animation of a scene: `start`,
/// then `draw` once a frame until `is_finished`, then `end`.
#[derive(Debug)]
pub struct EventVisualizer {
    pub phase: Phase,
    pub anim: Animation,
}

impl EventVisualizer {
    pub open spec fn wf(&self) -> bool {
        match self.anim {
            Animation::Move { path, speed, step, progress, .. } => {
                &&& speed > 0
                &&& path@.len() <= usize::MAX
                &&& step <= path@.len()
                &&& progress < STEP
                &&& step == path@.len() ==> progress == 0
            },
            Animation::EndTurn | Animation::Skip => true,
            Animation::CreateUnit { frame, .. } => frame <= CREATE_FRAMES,
            Animation::AttackUnit { frame, .. } => frame <= ATTACK_FRAMES,
        }
    }

    /// Progress units still to cover: zero exactly when the animation is done.
    pub open spec fn remaining(&self) -> int {
        match self.anim {
            Animation::Move { path, step, progress, .. } => (path@.len() - step) * STEP - progress,
            Animation::EndTurn | Animation::Skip => 0,
            Animation::CreateUnit { frame, .. } => CREATE_FRAMES - frame,
            Animation::AttackUnit { frame, .. } => ATTACK_FRAMES - frame,
        }
    }

    pub open spec fn spec_is_finished(&self) -> bool {
        self.remaining() == 0
    }

    /// No progress made yet.
    pub open spec fn is_fresh(&self) -> bool {
        &&& self.phase == Phase::NotStarted
        &&& match self.anim {
            Animation::Move { step, progress, .. } => step == 0 && progress == 0,
            Animation::EndTurn | Animation::Skip => true,
            Animation::CreateUnit { frame, .. } => frame == 0,
            Animation::AttackUnit { frame, .. } => frame == 0,
        }
    }

    /// Started and without progress yet.
    pub open spec fn is_fresh_but_started(&self) -> bool {
        EventVisualizer { phase: Phase::NotStarted, ..*self }.is_fresh()
    }

    /// The animation shows nothing over time: it is done on start.
    pub open spec fn is_instant(&self) -> bool {
        match self.anim {
            Animation::Move { path, .. } => path@.len() == 0,
            Animation::EndTurn | Animation::Skip => true,
            _ => false,
        }
    }

    /// The state after `start`.
    pub open spec fn started(self) -> EventVisualizer {
        EventVisualizer { phase: Phase::Running, ..self }
    }

    /// The state after one `draw`.
    pub open spec fn drawn(self) -> EventVisualizer {
        match self.anim {
            Animation::Move { unit_id, mesh_id, start, path, speed, step, progress } => {
                if step < path@.len() {
                    if progress + speed >= STEP {
                        EventVisualizer {
                            anim: Animation::Move {
                                unit_id, mesh_id, start, path, speed, step: (step + 1) as usize, progress: 0,
                            },
                            ..self
                        }
                    } else {
                        EventVisualizer {
                            anim: Animation::Move {
                                unit_id, mesh_id, start, path, speed, step, progress: (progress + speed) as u32,
                            },
                            ..self
                        }
                    }
                } else {
                    self
                }
            },
            Animation::EndTurn | Animation::Skip => self,
            Animation::CreateUnit { unit_id, pos, mesh_id, frame } => {
                if frame < CREATE_FRAMES {
                    EventVisualizer {
                        anim: Animation::CreateUnit { unit_id, pos, mesh_id, frame: (frame + 1) as u32 },
                        ..self
                    }
                } else {
                    self
                }
            },
            Animation::AttackUnit { attacker_id, defender_id, killed, attacker_pos, defender_pos, frame } => {
                if frame < ATTACK_FRAMES {
                    EventVisualizer {
                        anim: Animation::AttackUnit {
                            attacker_id, defender_id, killed, attacker_pos, defender_pos, frame: (frame + 1) as u32,
                        },
                        ..self
                    }
                } else {
                    self
                }
            },
        }
    }

    /// The state after `n` draws.
    pub open spec fn drawn_times(self, n: nat) -> EventVisualizer
        decreases n,
    {
        if n == 0 {
            self
        } else {
            self.drawn().drawn_times((n - 1) as nat)
        }
    }

    /// The scene after `start`.
    pub open spec fn scene_after_start(&self, old: Map<u64, SceneNode>, new: Map<u64, SceneNode>) -> bool {
        match self.anim {
            Animation::Move { unit_id, mesh_id, start, .. } => {
                let id = spec_unit_node_id(unit_id);
                if old.contains_key(id) {
                    new == old.insert(id, old[id].with_pos(NodePos::spec_at(start)))
                } else {
                    gains_fresh_node(old, new, id, NodePos::spec_at(start), mesh_id)
                }
            },
            Animation::EndTurn | Animation::Skip => new == old,
            Animation::CreateUnit { unit_id, pos, mesh_id, .. } => {
                gains_fresh_node(old, new, spec_unit_node_id(unit_id), NodePos::spec_lifted_at(pos), mesh_id)
            },
            Animation::AttackUnit { .. } => new == old,
        }
    }

    /// The scene after a `draw` that left the animation in this state.
    pub open spec fn scene_after_draw(&self, old: Map<u64, SceneNode>) -> Map<u64, SceneNode> {
        match self.anim {
            Animation::Move { unit_id, start, path, step, progress, .. } => {
                moved(old, spec_unit_node_id(unit_id), walk_pos(start, path@, step as int, progress))
            },
            Animation::EndTurn | Animation::Skip => old,
            Animation::CreateUnit { .. } => old,
            Animation::AttackUnit { attacker_id, attacker_pos, defender_pos, frame, .. } => {
                moved(old, spec_unit_node_id(attacker_id), lunge_pos(attacker_pos, defender_pos, frame))
            },
        }
    }

    /// The scene after `end`: the exact state that the event implies.
    pub open spec fn scene_after_end(&self, old: Map<u64, SceneNode>, new: Map<u64, SceneNode>) -> bool {
        match self.anim {
            Animation::Move { unit_id, start, path, .. } => {
                new == moved(old, spec_unit_node_id(unit_id), NodePos::spec_at(walk_end(start, path@)))
            },
            Animation::EndTurn | Animation::Skip => new == old,
            Animation::CreateUnit { unit_id, pos, mesh_id, .. } => {
                gains_fresh_node(old, new, spec_unit_node_id(unit_id), NodePos::spec_at(pos), mesh_id)
            },
            Animation::AttackUnit { attacker_id, defender_id, killed, attacker_pos, .. } => {
                let back = moved(old, spec_unit_node_id(attacker_id), NodePos::spec_at(attacker_pos));
                new == if killed {
                    back.remove(spec_unit_node_id(defender_id))
                } else {
                    back
                }
            },
        }
    }
}

impl EventVisualizer {
    /// The walk of `unit_id` from `start` along `path`, covering `speed`
    /// thousandths of a step per frame (a speed of zero counts as one).
    pub fn new_move(unit_id: UnitId, mesh_id: MeshId, start: MapPos, path: Vec<MapPos>, speed: u32) -> (r: EventVisualizer)
        ensures
            r.wf(),
            r.is_fresh(),
            r.anim == (Animation::Move {
                unit_id, mesh_id, start, path, speed: if speed == 0 { 1 } else { speed }, step: 0, progress: 0,
            }),
    {
        let speed = if speed == 0 { 1 } else { speed };
        let len: usize = path.len();
        assert(path@.len() == len);
        EventVisualizer {
            phase: Phase::NotStarted,
            anim: Animation::Move { unit_id, mesh_id, start, path, speed, step: 0, progress: 0 },
        }
    }

    /// The hand-over of the turn.
    pub fn new_end_turn() -> (r: EventVisualizer)
        ensures
            r.wf(),
            r.is_fresh(),
            r.anim == Animation::EndTurn,
    {
        EventVisualizer { phase: Phase::NotStarted, anim: Animation::EndTurn }
    }

    /// An animation that shows nothing.
    pub fn new_skip() -> (r: EventVisualizer)
        ensures
            r.wf(),
            r.is_fresh(),
            r.anim == Animation::Skip,
    {
        EventVisualizer { phase: Phase::NotStarted, anim: Animation::Skip }
    }

    /// The spawn of unit `unit_id` on `pos`.
    pub fn new_create_unit(unit_id: UnitId, pos: MapPos, mesh_id: MeshId) -> (r: EventVisualizer)
        ensures
            r.wf(),
            r.is_fresh(),
            r.anim == (Animation::CreateUnit { unit_id, pos, mesh_id, frame: 0 }),
    {
        EventVisualizer { phase: Phase::NotStarted, anim: Animation::CreateUnit { unit_id, pos, mesh_id, frame: 0 } }
    }

    /// The attack of the unit on `attacker_pos` on the one on `defender_pos`.
    pub fn new_attack_unit(
        attacker_id: UnitId,
        defender_id: UnitId,
        killed: bool,
        attacker_pos: MapPos,
        defender_pos: MapPos,
    ) -> (r: EventVisualizer)
        ensures
            r.wf(),
            r.is_fresh(),
            r.anim == (Animation::AttackUnit {
                attacker_id, defender_id, killed, attacker_pos, defender_pos, frame: 0,
            }),
    {
        EventVisualizer {
            phase: Phase::NotStarted,
            anim: Animation::AttackUnit { attacker_id, defender_id, killed, attacker_pos, defender_pos, frame: 0 },
        }
    }

    /// Prepares the nodes that the animation drives and sets it running.
    pub fn start(&mut self, scene: &mut Scene)
        requires
            old(self).wf(),
            old(self).phase == Phase::NotStarted,
        ensures
            *final(self) == old(self).started(),
            old(self).scene_after_start(old(scene)@, final(scene)@),
    {
        self.phase = Phase::Running;
        match &self.anim {
            Animation::Move { unit_id, mesh_id, start, .. } => {
                let id = unit_node_id(*unit_id);
                if scene.contains(id) {
                    scene.set_pos(id, NodePos::at(*start));
                } else {
                    scene.insert(id, SceneNode { pos: NodePos::at(*start), rot: 0, mesh_id: Some(*mesh_id), children: Vec::new() });
                }
            },
            Animation::EndTurn | Animation::Skip => {},
            Animation::CreateUnit { unit_id, pos, mesh_id, .. } => {
                let id = unit_node_id(*unit_id);
                scene.insert(id, SceneNode { pos: NodePos::lifted_at(*pos), rot: 0, mesh_id: Some(*mesh_id), children: Vec::new() });
            },
            Animation::AttackUnit { .. } => {},
        }
    }

    /// Whether the animation has reached its end.
    pub fn is_finished(&self) -> (r: bool)
        requires
            self.wf(),
        ensures
            r == self.spec_is_finished(),
    {
        match &self.anim {
            Animation::Move { path, step, .. } => *step == path.len(),
            Animation::EndTurn | Animation::Skip => true,
            Animation::CreateUnit { frame, .. } => *frame == CREATE_FRAMES,
            Animation::AttackUnit { frame, .. } => *frame == ATTACK_FRAMES,
        }
    }

    /// Advances the animation by one frame and writes the new positions
    /// into the scene.
    pub fn draw(&mut self, scene: &mut Scene)
        requires
            old(self).wf(),
            old(self).phase == Phase::Running,
        ensures
            *final(self) == old(self).drawn(),
            final(self).wf(),
            final(scene)@ == old(self).drawn().scene_after_draw(old(scene)@),
    {
        match &mut self.anim {
            Animation::Move { unit_id, start, path, speed, step, progress, .. } => {
                if *step < path.len() {
                    let next: u64 = *progress as u64 + *speed as u64;
                    if next >= STEP as u64 {
                        *step = *step + 1;
                        *progress = 0;
                    } else {
                        *progress = next as u32;
                    }
                }
                let pos = if *step < path.len() {
                    let from = if *step == 0 { *start } else { path[*step - 1] };
                    NodePos { from, to: path[*step], num: *progress, den: STEP, lifted: false }
                } else if path.len() == 0 {
                    NodePos::at(*start)
                } else {
                    NodePos::at(path[path.len() - 1])
                };
                scene.set_pos(unit_node_id(*unit_id), pos);
            },
            Animation::EndTurn | Animation::Skip => {},
            Animation::CreateUnit { frame, .. } => {
                if *frame < CREATE_FRAMES {
                    *frame = *frame + 1;
                }
            },
            Animation::AttackUnit { attacker_id, attacker_pos, defender_pos, frame, .. } => {
                if *frame < ATTACK_FRAMES {
                    *frame = *frame + 1;
                }
                let back = ATTACK_FRAMES - *frame;
                let num = if *frame <= back { *frame } else { back };
                let pos = NodePos { from: *attacker_pos, to: *defender_pos, num, den: LUNGE_DEN, lifted: false };
                scene.set_pos(unit_node_id(*attacker_id), pos);
            },
        }
    }

    /// Snaps the scene to the exact state that the event implies and
    /// closes the animation.
    pub fn end(&mut self, scene: &mut Scene)
        requires
            old(self).wf(),
            old(self).phase == Phase::Running,
            old(self).spec_is_finished(),
        ensures
            *final(self) == (EventVisualizer { phase: Phase::Finished, ..*old(self) }),
            old(self).scene_after_end(old(scene)@, final(scene)@),
    {
        self.phase = Phase::Finished;
        match &self.anim {
            Animation::Move { unit_id, start, path, .. } => {
                let last = if path.len() == 0 { *start } else { path[path.len() - 1] };
                scene.set_pos(unit_node_id(*unit_id), NodePos::at(last));
            },
            Animation::EndTurn | Animation::Skip => {},
            Animation::CreateUnit { unit_id, pos, mesh_id, .. } => {
                let id = unit_node_id(*unit_id);
                scene.insert(id, SceneNode { pos: NodePos::at(*pos), rot: 0, mesh_id: Some(*mesh_id), children: Vec::new() });
            },
            Animation::AttackUnit { attacker_id, defender_id, killed, attacker_pos, .. } => {
                scene.set_pos(unit_node_id(*attacker_id), NodePos::at(*attacker_pos));
                if *killed {
                    let _ = scene.remove(unit_node_id(*defender_id));
                }
            },
        }
    }
}

/// One draw of a well-formed animation keeps it well formed, leaves a done
/// animation as it is, and brings an unfinished one strictly closer to its
/// end.
pub proof fn lemma_draw_progresses(v: EventVisualizer)
    requires
        v.wf(),
    ensures
        v.drawn().wf(),
        v.drawn().phase == v.phase,
        0 <= v.drawn().remaining() <= v.remaining(),
        v.spec_is_finished() ==> v.drawn() == v,
        !v.spec_is_finished() ==> v.drawn().remaining() < v.remaining(),
{
    match v.anim {
        Animation::Move { path, speed, step, progress, .. } => {
            let len = path@.len() as int;
            let k = step as int;
            assert((len - k) * STEP >= 0) by (nonlinear_arith)
                requires k <= len;
            if k < len {
                assert((len - k) * STEP == (len - k - 1) * STEP + STEP) by (nonlinear_arith);
                assert((len - k - 1) * STEP >= 0) by (nonlinear_arith)
                    requires k < len;
                if progress + speed >= STEP {
                    assert(v.drawn().remaining() == (len - (k + 1)) * STEP);
                } else {
                    assert(v.drawn().remaining() == (len - k) * STEP - (progress + speed));
                }
            } else {
                assert(v.remaining() == 0);
            }
        },
        _ => {},
    }
}

/// A well-formed animation has a non-negative amount of work left.
pub proof fn lemma_remaining_nonneg(v: EventVisualizer)
    requires
        v.wf(),
    ensures
        v.remaining() >= 0,
{
    lemma_draw_progresses(v);
}

/// Whatever its state, a well-formed animation is finished after as many
/// draws as it has progress units left, and stays finished after more.
pub proof fn lemma_finishes_within(v: EventVisualizer, n: nat)
    requires
        v.wf(),
        n >= v.remaining(),
    ensures
        v.drawn_times(n).wf(),
        v.drawn_times(n).phase == v.phase,
        v.drawn_times(n).spec_is_finished(),
    decreases n,
{
    lemma_draw_progresses(v);
    if n > 0 {
        lemma_finishes_within(v.drawn(), (n - 1) as nat);
    }
}

/// Right after `start` an animation is unfinished unless it is instant, and
/// a bounded number of draws then finishes it: a walk needs at most
/// `STEP` draws a tile, a spawn `CREATE_FRAMES`, an attack
/// `ATTACK_FRAMES`.
pub proof fn lemma_started_animation_finishes(v: EventVisualizer)
    requires
        v.wf(),
        v.is_fresh(),
    ensures
        v.started().wf(),
        v.started().spec_is_finished() <==> v.is_instant(),
        v.started().remaining() == match v.anim {
            Animation::Move { path, .. } => path@.len() * STEP,
            Animation::EndTurn | Animation::Skip => 0,
            Animation::CreateUnit { .. } => CREATE_FRAMES as int,
            Animation::AttackUnit { .. } => ATTACK_FRAMES as int,
        },
        v.started().drawn_times(v.started().remaining() as nat).spec_is_finished(),
        v.started().drawn_times(v.started().remaining() as nat).phase == Phase::Running,
{
    let s = v.started();
    match v.anim {
        Animation::Move { path, .. } => {
            assert(path@.len() * STEP == 0 <==> path@.len() == 0) by (nonlinear_arith);
        },
        _ => {},
    }
    lemma_remaining_nonneg(s);
    lemma_finishes_within(s, s.remaining() as nat);
}

} // verus!
