//! The object drag controller: spawning physics bodies and picking one up,
//! holding it and letting it go.
//!
//! The controller only remembers what is being dragged. Each frame it tells
//! the host where along the pointer ray to pull the body, or to stop pulling;
//! the host solves the constraint.

use vstd::prelude::*;
use crate::input::DigitalState;
use crate::world::{Point, RaycastHit, RaycastObject, UNITS_PER_VOXEL};

verus! {

/// How far short of the struck surface a new body is placed: 30 voxels.
pub const SPAWN_STANDOFF: u32 = 30 * UNITS_PER_VOXEL;

/// The farthest from the ray's origin that a new body is placed: 50 voxels.
pub const SPAWN_REACH: u32 = 50 * UNITS_PER_VOXEL;

/// Where along the pointer ray a new body is placed, in distance units.
#[derive(Clone, Copy, Debug, PartialEq, Eq, Structural)]
pub struct SpawnRange {
    /// Gap kept between the new body and the struck surface.
    pub standoff: u32,
    /// Largest distance from the ray's origin; also the distance used when
    /// the ray strikes nothing.
    pub reach: u32,
}

impl SpawnRange {
    /// The stock range: 30 voxels short of the surface, at most 50 voxels out.
    pub open spec fn standard() -> SpawnRange {
        SpawnRange { standoff: SPAWN_STANDOFF, reach: SPAWN_REACH }
    }

    /// Distance from the ray's origin at which a new body is placed: the hit
    /// distance less the standoff, held within zero and the reach; the reach
    /// itself when nothing was struck.
    pub open spec fn spec_placement(self, hit: Option<RaycastHit>) -> int {
        match hit {
            Some(h) => {
                if h.distance <= self.standoff {
                    0
                } else if h.distance - self.standoff >= self.reach {
                    self.reach as int
                } else {
                    h.distance - self.standoff
                }
            },
            None => self.reach as int,
        }
    }

    /// Distance from the ray's origin at which a new body is placed.
    pub fn placement(&self, hit: Option<RaycastHit>) -> (distance: u32)
        ensures
            distance == self.spec_placement(hit),
            distance <= self.reach,
            hit matches Some(h) ==> distance <= h.distance,
    {
        match hit {
            Some(h) => {
                if h.distance <= self.standoff {
                    0
                } else {
                    let beyond: u32 = h.distance - self.standoff;
                    if beyond >= self.reach {
                        self.reach
                    } else {
                        beyond
                    }
                }
            },
            None => self.reach,
        }
    }
}

impl Default for SpawnRange {
    fn default() -> (range: SpawnRange)
        ensures
            range == SpawnRange::standard(),
    {
        SpawnRange { standoff: SPAWN_STANDOFF, reach: SPAWN_REACH }
    }
}

/// The body that is being dragged.
#[derive(Clone, Copy, Debug, PartialEq, Eq, Structural)]
pub struct DraggedObject {
    /// The body-local point at which the body was grabbed.
    pub contact_point: Point,
    /// The identifier of the entity.
    pub id: u64,
    /// How far from the player the body is held, in distance units.
    pub distance: u32,
}

impl DraggedObject {
    /// The grip that a fresh drag takes from a hit on the entity `id`: the
    /// middle of the struck voxel, held at the hit's distance.
    pub open spec fn grabbed(hit: RaycastHit, id: u64) -> DraggedObject {
        DraggedObject { contact_point: hit.voxel.center(), id, distance: hit.distance }
    }
}

/// A request to create a physics body.
#[derive(Clone, Copy, Debug, PartialEq, Eq, Structural)]
pub struct SpawnCommand {
    /// Distance from the ray's origin, along the ray, of the new body.
    pub distance: u32,
    /// The kind of body to create.
    pub kind: u32,
}

/// What the host is told about dragging in one frame.
#[derive(Clone, Copy, Debug, PartialEq, Eq, Structural)]
pub enum DragCommand {
    /// Nothing is dragged and nothing was: no message.
    Nothing,
    /// The drag has ended: stop pulling.
    Release,
    /// Pull the body towards the point on the pointer ray at the held
    /// distance.
    Pull(DraggedObject),
}

/// All that one frame asks of the host about physics bodies, in the order in
/// which the host acts: first the spawn, then the drag.
#[derive(Clone, Copy, Debug, PartialEq, Eq, Structural)]
pub struct ObjectCommands {
    pub spawn: Option<SpawnCommand>,
    pub drag: DragCommand,
}

/// State of the object drag controller between frames. `dragged` is `None`
/// while idle and holds the one dragged body while dragging.
#[derive(Clone, Copy, Debug, PartialEq, Eq, Structural)]
pub struct ObjectDragController {
    /// The body being dragged, if any.
    pub dragged: Option<DraggedObject>,
    /// The kind of the body spawned last; the next one gets the kind after it.
    pub object_kind: u32,
}

/// The counter after `n`, starting again from zero after the largest value.
pub open spec fn wrapping_successor(n: u32) -> u32 {
    if n == u32::MAX {
        0
    } else {
        (n + 1) as u32
    }
}

impl ObjectDragController {
    /// The controller at start: idle, no body spawned yet.
    pub open spec fn spec_new() -> ObjectDragController {
        ObjectDragController { dragged: None, object_kind: 0 }
    }

    /// The controller at start: idle, no body spawned yet.
    #[verifier::when_used_as_spec(spec_new)]
    pub fn new() -> (c: ObjectDragController)
        ensures
            c == ObjectDragController::spec_new(),
    {
        ObjectDragController { dragged: None, object_kind: 0 }
    }

    /// Whether a body is being dragged.
    pub open spec fn dragging(self) -> bool {
        self.dragged is Some
    }

    /// The spawn that this frame asks for: one body of the next kind, if the
    /// spawn action was freshly pressed.
    pub open spec fn spawn_command(
        self,
        range: SpawnRange,
        hit: Option<RaycastHit>,
        spawn: DigitalState,
    ) -> Option<SpawnCommand> {
        if spawn.pressed {
            Some(
                SpawnCommand {
                    distance: range.spec_placement(hit) as u32,
                    kind: wrapping_successor(self.object_kind),
                },
            )
        } else {
            None
        }
    }

    /// The kind counter after this frame: advanced by a spawn, else as it was.
    pub open spec fn next_kind(self, spawn: DigitalState) -> u32 {
        if spawn.pressed {
            wrapping_successor(self.object_kind)
        } else {
            self.object_kind
        }
    }

    /// What is dragged after this frame.
    ///
    /// A drag in progress ends when the drag action is no longer held. While
    /// idle, a fresh press of the drag action on an entity begins a drag; on
    /// the world surface, or with no hit, it begins none. Otherwise nothing
    /// changes.
    pub open spec fn next_dragged(
        self,
        hit: Option<RaycastHit>,
        drag: DigitalState,
    ) -> Option<DraggedObject> {
        if self.dragged is Some {
            if drag.held {
                self.dragged
            } else {
                None
            }
        } else if drag.pressed {
            match hit {
                Some(h) => match h.object {
                    RaycastObject::Entity { id } => Some(DraggedObject::grabbed(h, id)),
                    RaycastObject::World => None,
                },
                None => None,
            }
        } else {
            None
        }
    }

    /// What the host is told about dragging in this frame: to pull the body
    /// that is dragged after the frame, to stop pulling if the frame ended a
    /// drag, and nothing otherwise.
    pub open spec fn drag_command(self, hit: Option<RaycastHit>, drag: DigitalState) -> DragCommand {
        match self.next_dragged(hit, drag) {
            Some(d) => DragCommand::Pull(d),
            None => if self.dragged is Some {
                DragCommand::Release
            } else {
                DragCommand::Nothing
            },
        }
    }

    /// The controller after this frame.
    pub open spec fn after(
        self,
        hit: Option<RaycastHit>,
        drag: DigitalState,
        spawn: DigitalState,
    ) -> ObjectDragController {
        ObjectDragController {
            dragged: self.next_dragged(hit, drag),
            object_kind: self.next_kind(spawn),
        }
    }

    /// Advances the controller by one frame in which the pointer has a ray,
    /// and says what the host is to do. `hit` is what that ray struck, if
    /// anything.
    pub fn step(
        &mut self,
        range: &SpawnRange,
        hit: Option<RaycastHit>,
        drag: DigitalState,
        spawn: DigitalState,
    ) -> (commands: ObjectCommands)
        ensures
            *final(self) == old(self).after(hit, drag, spawn),
            commands.spawn == old(self).spawn_command(*range, hit, spawn),
            commands.drag == old(self).drag_command(hit, drag),
            final(self).dragged matches Some(d) ==> commands.drag == DragCommand::Pull(d),
            commands.drag is Pull <==> final(self).dragging(),
            commands.drag is Release <==> old(self).dragging() && !drag.held,
            !old(self).dragging() && final(self).dragging() ==> drag.pressed && hit is Some
                && hit->0.object is Entity,
    {
        let mut spawned: Option<SpawnCommand> = None;
        if spawn.pressed {
            let distance = range.placement(hit);
            self.object_kind = self.object_kind.wrapping_add(1);
            spawned = Some(SpawnCommand { distance, kind: self.object_kind });
        }
        let mut released = false;
        if !drag.held && self.dragged.is_some() {
            released = true;
            self.dragged = None;
        } else if drag.pressed && self.dragged.is_none() {
            if let Some(h) = hit {
                if let RaycastObject::Entity { id } = h.object {
                    self.dragged = Some(
                        DraggedObject { contact_point: h.voxel.center(), id, distance: h.distance },
                    );
                }
            }
        }
        let told = match self.dragged {
            Some(d) => DragCommand::Pull(d),
            None => if released {
                DragCommand::Release
            } else {
                DragCommand::Nothing
            },
        };
        ObjectCommands { spawn: spawned, drag: told }
    }
}

/// A drag never begins on the world surface, nor without a hit: from idle,
/// the controller is dragging after a frame only if the drag action was
/// freshly pressed while the ray struck an entity, and then it drags that
/// entity.
pub proof fn lemma_drag_begins_only_on_entity(
    state: ObjectDragController,
    hit: Option<RaycastHit>,
    drag: DigitalState,
    spawn: DigitalState,
)
    requires
        !state.dragging(),
    ensures
        state.after(hit, drag, spawn).dragging() <==> drag.pressed && hit is Some
            && hit->0.object is Entity,
        state.after(hit, drag, spawn).dragged matches Some(d) ==> hit->0.object
            == (RaycastObject::Entity { id: d.id }),
        !state.after(hit, drag, spawn).dragging() ==> state.drag_command(hit, drag)
            == DragCommand::Nothing,
{
}

/// Letting go of the drag action ends the drag in that very frame, whatever
/// the ray strikes, and also when it strikes nothing; the host is told to
/// stop pulling.
pub proof fn lemma_release_clears_drag(
    state: ObjectDragController,
    hit: Option<RaycastHit>,
    drag: DigitalState,
    spawn: DigitalState,
)
    requires
        state.dragging(),
        !drag.held,
    ensures
        !state.after(hit, drag, spawn).dragging(),
        state.drag_command(hit, drag) == DragCommand::Release,
{
}

/// There is one dragged body at most: while the drag goes on, the body that
/// is held stays the same, whatever else the ray strikes and whether or not
/// the action is pressed again.
pub proof fn lemma_held_drag_is_kept(
    state: ObjectDragController,
    hit: Option<RaycastHit>,
    drag: DigitalState,
    spawn: DigitalState,
)
    requires
        state.dragging(),
        drag.held,
    ensures
        state.after(hit, drag, spawn).dragged == state.dragged,
        state.drag_command(hit, drag) == DragCommand::Pull(state.dragged->0),
{
}

/// A new body is never placed beyond the reach, nor behind the surface that
/// the ray struck, and each spawn takes the kind after the previous one.
pub proof fn lemma_spawn_is_within_reach(
    state: ObjectDragController,
    range: SpawnRange,
    hit: Option<RaycastHit>,
    spawn: DigitalState,
)
    requires
        spawn.pressed,
    ensures
        state.spawn_command(range, hit, spawn) matches Some(c) && c.distance <= range.reach && (hit
            is Some ==> c.distance <= hit->0.distance) && c.kind as int == (state.object_kind + 1)
            % 0x1_0000_0000,
{
}

} // verus!
